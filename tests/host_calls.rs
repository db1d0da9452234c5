use mumble_plugin::api::{search_result, status_result};
use mumble_plugin::types::{
    ChannelIdT, ConnectionT, ErrorT, PluginId, TransmissionMode, TransmissionModeT, UserIdT,
    EC_CHANNEL_NOT_FOUND, EC_OK, EC_USER_NOT_FOUND,
};
use mumble_plugin::{ApiError, Freeable, FreeableMaybeUninit, HostPort, HostTable, MumbleAPI};
use std::cell::RefCell;
use std::collections::HashMap;

#[derive(Default)]
struct HostState {
    status: i32,
    next_pointer: usize,
    texts: HashMap<usize, Vec<u8>>,
    user_arrays: HashMap<usize, Vec<UserIdT>>,
    channel_arrays: HashMap<usize, Vec<ChannelIdT>>,
    reply_text: Vec<u8>,
    reply_users: Vec<UserIdT>,
    reply_channels: Vec<ChannelIdT>,
    reply_user: u32,
    reply_channel: i32,
    freed: Vec<usize>,
    calls: Vec<String>,
}

impl HostState {
    fn allocate(&mut self) -> usize {
        self.next_pointer += 16;
        self.next_pointer
    }
}

#[derive(Clone, Copy)]
struct FakeHost<'a> {
    state: &'a RefCell<HostState>,
}

impl<'a> FakeHost<'a> {
    fn status(&self) -> ErrorT {
        ErrorT::from_code(self.state.borrow().status)
    }

    fn text_out(&self, call: &str, out: &mut usize) -> ErrorT {
        let mut st = self.state.borrow_mut();
        st.calls.push(call.to_string());
        if st.status == EC_OK {
            let p = st.allocate();
            let text = st.reply_text.clone();
            st.texts.insert(p, text);
            *out = p;
        }
        ErrorT::from_code(st.status)
    }

    fn users_out(&self, call: &str, out: &mut usize, count: &mut usize) -> ErrorT {
        let mut st = self.state.borrow_mut();
        st.calls.push(call.to_string());
        if st.status == EC_OK {
            let p = st.allocate();
            let users = st.reply_users.clone();
            *count = users.len();
            st.user_arrays.insert(p, users);
            *out = p;
        }
        ErrorT::from_code(st.status)
    }

    fn plain(&self, call: String) -> ErrorT {
        self.state.borrow_mut().calls.push(call);
        self.status()
    }
}

impl<'a> HostPort for FakeHost<'a> {
    fn get_active_server_connection(&self, _id: PluginId, conn: &mut ConnectionT) -> ErrorT {
        *conn = ConnectionT(5);
        self.plain("get_active_server_connection".to_string())
    }

    fn is_connection_synchronized(&self, _id: PluginId, _conn: ConnectionT, s: &mut bool) -> ErrorT {
        *s = true;
        self.plain("is_connection_synchronized".to_string())
    }

    fn get_local_user_id(&self, _id: PluginId, _conn: ConnectionT, user: &mut UserIdT) -> ErrorT {
        *user = UserIdT(self.state.borrow().reply_user);
        self.plain("get_local_user_id".to_string())
    }

    fn get_user_name(&self, _id: PluginId, _c: ConnectionT, _u: UserIdT, name: &mut usize) -> ErrorT {
        self.text_out("get_user_name", name)
    }

    fn get_channel_name(&self, _id: PluginId, _c: ConnectionT, _ch: ChannelIdT, name: &mut usize) -> ErrorT {
        self.text_out("get_channel_name", name)
    }

    fn get_all_users(&self, _id: PluginId, _c: ConnectionT, users: &mut usize, count: &mut usize) -> ErrorT {
        self.users_out("get_all_users", users, count)
    }

    fn get_all_channels(&self, _id: PluginId, _c: ConnectionT, channels: &mut usize, count: &mut usize) -> ErrorT {
        let mut st = self.state.borrow_mut();
        st.calls.push("get_all_channels".to_string());
        if st.status == EC_OK {
            let p = st.allocate();
            let chans = st.reply_channels.clone();
            *count = chans.len();
            st.channel_arrays.insert(p, chans);
            *channels = p;
        }
        ErrorT::from_code(st.status)
    }

    fn get_channel_of_user(&self, _id: PluginId, _c: ConnectionT, _u: UserIdT, channel: &mut ChannelIdT) -> ErrorT {
        *channel = ChannelIdT(self.state.borrow().reply_channel);
        self.plain("get_channel_of_user".to_string())
    }

    fn get_users_in_channel(
        &self,
        _id: PluginId,
        _c: ConnectionT,
        _ch: ChannelIdT,
        users: &mut usize,
        count: &mut usize,
    ) -> ErrorT {
        self.users_out("get_users_in_channel", users, count)
    }

    fn get_local_user_transmission_mode(&self, _id: PluginId, mode: &mut TransmissionModeT) -> ErrorT {
        *mode = TransmissionModeT(TransmissionMode::TM_PUSH_TO_TALK);
        self.plain("get_local_user_transmission_mode".to_string())
    }

    fn is_user_locally_muted(&self, _id: PluginId, _c: ConnectionT, _u: UserIdT, muted: &mut bool) -> ErrorT {
        *muted = true;
        self.plain("is_user_locally_muted".to_string())
    }

    fn is_local_user_muted(&self, _id: PluginId, muted: &mut bool) -> ErrorT {
        *muted = true;
        self.plain("is_local_user_muted".to_string())
    }

    fn get_user_hash(&self, _id: PluginId, _c: ConnectionT, _u: UserIdT, hash: &mut usize) -> ErrorT {
        self.text_out("get_user_hash", hash)
    }

    fn get_server_hash(&self, _id: PluginId, _c: ConnectionT, hash: &mut usize) -> ErrorT {
        self.text_out("get_server_hash", hash)
    }

    fn get_user_comment(&self, _id: PluginId, _c: ConnectionT, _u: UserIdT, comment: &mut usize) -> ErrorT {
        self.text_out("get_user_comment", comment)
    }

    fn get_channel_description(&self, _id: PluginId, _c: ConnectionT, _ch: ChannelIdT, d: &mut usize) -> ErrorT {
        self.text_out("get_channel_description", d)
    }

    fn request_local_user_transmission_mode(&self, _id: PluginId, mode: TransmissionModeT) -> ErrorT {
        self.plain(format!("request_local_user_transmission_mode {}", mode.0.raw()))
    }

    fn request_user_move(
        &self,
        _id: PluginId,
        _c: ConnectionT,
        user: UserIdT,
        channel: ChannelIdT,
        password: Option<&str>,
    ) -> ErrorT {
        self.plain(format!("request_user_move {} {} {:?}", user.0, channel.0, password))
    }

    fn request_microphone_activation_overwrite(&self, _id: PluginId, activated: bool) -> ErrorT {
        self.plain(format!("request_microphone_activation_overwrite {}", activated))
    }

    fn request_local_mute(&self, _id: PluginId, _c: ConnectionT, user: UserIdT, muted: bool) -> ErrorT {
        self.plain(format!("request_local_mute {} {}", user.0, muted))
    }

    fn request_local_user_mute(&self, _id: PluginId, muted: bool) -> ErrorT {
        self.plain(format!("request_local_user_mute {}", muted))
    }

    fn request_set_local_user_comment(&self, _id: PluginId, _c: ConnectionT, comment: &str) -> ErrorT {
        self.plain(format!("request_set_local_user_comment {}", comment))
    }

    fn find_user_by_name(&self, _id: PluginId, _c: ConnectionT, name: &str, user: &mut UserIdT) -> ErrorT {
        *user = UserIdT(self.state.borrow().reply_user);
        self.plain(format!("find_user_by_name {}", name))
    }

    fn find_channel_by_name(&self, _id: PluginId, _c: ConnectionT, name: &str, channel: &mut ChannelIdT) -> ErrorT {
        *channel = ChannelIdT(self.state.borrow().reply_channel);
        self.plain(format!("find_channel_by_name {}", name))
    }

    fn send_data(
        &self,
        _id: PluginId,
        _c: ConnectionT,
        users: &[UserIdT],
        data: &str,
        data_id: &str,
    ) -> ErrorT {
        self.plain(format!("send_data {} {} {}", users.len(), data, data_id))
    }

    fn log(&self, _id: PluginId, message: &str) -> ErrorT {
        self.plain(format!("log {}", message))
    }

    fn play_sample(&self, _id: PluginId, path: &str) -> ErrorT {
        self.plain(format!("play_sample {}", path))
    }

    fn free_memory(&self, _id: PluginId, pointer: usize) {
        self.state.borrow_mut().freed.push(pointer);
    }

    fn read_c_string(&self, pointer: usize) -> Vec<u8> {
        self.state.borrow().texts.get(&pointer).cloned().unwrap_or_default()
    }

    fn read_user_ids(&self, pointer: usize, count: usize) -> Vec<UserIdT> {
        let st = self.state.borrow();
        let v = st.user_arrays.get(&pointer).cloned().unwrap_or_default();
        v.into_iter().take(count).collect()
    }

    fn read_channel_ids(&self, pointer: usize, count: usize) -> Vec<ChannelIdT> {
        let st = self.state.borrow();
        let v = st.channel_arrays.get(&pointer).cloned().unwrap_or_default();
        v.into_iter().take(count).collect()
    }
}

fn handle(state: &RefCell<HostState>) -> MumbleAPI<FakeHost<'_>> {
    MumbleAPI::new(PluginId(9), FakeHost { state })
}

#[test]
fn user_name_is_decoded_and_released_once() {
    let state = RefCell::new(HostState::default());
    state.borrow_mut().reply_text = b"alice".to_vec();
    let mut api = handle(&state);
    let name = api.get_user_name(ConnectionT(1), UserIdT(2));
    assert_eq!(name, Ok("alice".to_string()));
    assert_eq!(state.borrow().freed, vec![16]);
}

#[test]
fn failed_call_releases_nothing_and_reports_status() {
    let state = RefCell::new(HostState::default());
    state.borrow_mut().status = 5;
    let mut api = handle(&state);
    let name = api.get_channel_name(ConnectionT(1), ChannelIdT(2));
    assert_eq!(name, Err(ApiError::Status(ErrorT::from_code(5))));
    assert!(state.borrow().freed.is_empty());
}

#[test]
fn invalid_utf8_text_is_still_released() {
    let state = RefCell::new(HostState::default());
    state.borrow_mut().reply_text = vec![0x66, 0xff, 0x66];
    let mut api = handle(&state);
    let hash = api.get_user_hash(ConnectionT(1), UserIdT(2));
    assert_eq!(hash, Err(ApiError::InvalidUtf8));
    assert_eq!(state.borrow().freed, vec![16]);
}

#[test]
fn every_text_getter_releases_exactly_once() {
    let state = RefCell::new(HostState::default());
    state.borrow_mut().reply_text = "héllo".as_bytes().to_vec();
    let mut api = handle(&state);
    assert_eq!(api.get_user_name(ConnectionT(1), UserIdT(2)), Ok("héllo".to_string()));
    assert_eq!(api.get_channel_name(ConnectionT(1), ChannelIdT(2)), Ok("héllo".to_string()));
    assert_eq!(api.get_user_hash(ConnectionT(1), UserIdT(2)), Ok("héllo".to_string()));
    assert_eq!(api.get_server_hash(ConnectionT(1)), Ok("héllo".to_string()));
    assert_eq!(api.get_user_comment(ConnectionT(1), UserIdT(2)), Ok("héllo".to_string()));
    assert_eq!(
        api.get_channel_description(ConnectionT(1), ChannelIdT(2)),
        Ok("héllo".to_string())
    );
    assert_eq!(state.borrow().freed, vec![16, 32, 48, 64, 80, 96]);
}

#[test]
fn user_arrays_are_copied_out_then_released() {
    let state = RefCell::new(HostState::default());
    state.borrow_mut().reply_users = vec![UserIdT(3), UserIdT(4), UserIdT(8)];
    let mut api = handle(&state);
    assert_eq!(
        api.get_all_users(ConnectionT(1)),
        Ok(vec![UserIdT(3), UserIdT(4), UserIdT(8)])
    );
    assert_eq!(
        api.get_users_in_channel(ConnectionT(1), ChannelIdT(0)),
        Ok(vec![UserIdT(3), UserIdT(4), UserIdT(8)])
    );
    assert_eq!(state.borrow().freed, vec![16, 32]);
}

#[test]
fn channel_arrays_are_copied_out_then_released() {
    let state = RefCell::new(HostState::default());
    state.borrow_mut().reply_channels = vec![ChannelIdT(0), ChannelIdT(7)];
    let mut api = handle(&state);
    assert_eq!(api.get_all_channels(ConnectionT(1)), Ok(vec![ChannelIdT(0), ChannelIdT(7)]));
    assert_eq!(state.borrow().freed, vec![16]);
}

#[test]
fn array_call_failure_releases_nothing() {
    let state = RefCell::new(HostState::default());
    state.borrow_mut().status = 2;
    let mut api = handle(&state);
    assert_eq!(
        api.get_all_users(ConnectionT(1)),
        Err(ApiError::Status(ErrorT::from_code(2)))
    );
    assert!(state.borrow().freed.is_empty());
}

#[test]
fn plain_value_getters() {
    let state = RefCell::new(HostState::default());
    state.borrow_mut().reply_user = 42;
    state.borrow_mut().reply_channel = 6;
    let mut api = handle(&state);
    assert_eq!(api.get_active_server_connection(), Ok(ConnectionT(5)));
    assert_eq!(api.is_connection_synchronized(ConnectionT(5)), Ok(true));
    assert_eq!(api.get_local_user_id(ConnectionT(5)), Ok(UserIdT(42)));
    assert_eq!(api.get_channel_of_user(ConnectionT(5), UserIdT(42)), Ok(Some(ChannelIdT(6))));
    assert_eq!(
        api.get_local_user_transmission_mode(),
        Ok(TransmissionModeT(TransmissionMode::TM_PUSH_TO_TALK))
    );
    assert_eq!(api.get_user_locally_muted(ConnectionT(5), UserIdT(42)), Ok(true));
    assert_eq!(api.get_local_user_muted(), Ok(true));
    assert!(state.borrow().freed.is_empty());
}

#[test]
fn plain_value_getter_failure() {
    let state = RefCell::new(HostState::default());
    state.borrow_mut().status = -1;
    let mut api = handle(&state);
    assert_eq!(
        api.get_active_server_connection(),
        Err(ApiError::Status(ErrorT::from_code(-1)))
    );
    assert_eq!(
        api.get_local_user_id(ConnectionT(5)),
        Err(ApiError::Status(ErrorT::from_code(-1)))
    );
}

#[test]
fn find_user_not_found_code_is_none() {
    let state = RefCell::new(HostState::default());
    state.borrow_mut().status = EC_USER_NOT_FOUND;
    let mut api = handle(&state);
    assert_eq!(api.find_user_by_name(ConnectionT(1), "bob"), Ok(None));
}

#[test]
fn find_user_other_code_is_error() {
    let state = RefCell::new(HostState::default());
    state.borrow_mut().status = 7;
    let mut api = handle(&state);
    assert_eq!(
        api.find_user_by_name(ConnectionT(1), "bob"),
        Err(ApiError::Status(ErrorT::from_code(7)))
    );
}

#[test]
fn find_user_found() {
    let state = RefCell::new(HostState::default());
    state.borrow_mut().reply_user = 11;
    let mut api = handle(&state);
    assert_eq!(api.find_user_by_name(ConnectionT(1), "bob"), Ok(Some(UserIdT(11))));
    assert_eq!(state.borrow().calls, vec!["find_user_by_name bob".to_string()]);
}

#[test]
fn find_channel_not_found_code_is_none() {
    let state = RefCell::new(HostState::default());
    state.borrow_mut().status = EC_CHANNEL_NOT_FOUND;
    let mut api = handle(&state);
    assert_eq!(api.find_channel_by_name(ConnectionT(1), "lobby"), Ok(None));
}

#[test]
fn find_channel_user_not_found_code_is_error() {
    let state = RefCell::new(HostState::default());
    state.borrow_mut().status = EC_USER_NOT_FOUND;
    let mut api = handle(&state);
    assert_eq!(
        api.find_channel_by_name(ConnectionT(1), "lobby"),
        Err(ApiError::Status(ErrorT::from_code(EC_USER_NOT_FOUND)))
    );
}

#[test]
fn find_channel_found() {
    let state = RefCell::new(HostState::default());
    state.borrow_mut().reply_channel = 3;
    let mut api = handle(&state);
    assert_eq!(api.find_channel_by_name(ConnectionT(1), "lobby"), Ok(Some(ChannelIdT(3))));
}

#[test]
fn embedded_nul_is_rejected_before_the_host_is_called() {
    let state = RefCell::new(HostState::default());
    let mut api = handle(&state);
    assert_eq!(api.find_user_by_name(ConnectionT(1), "a\0b"), Err(ApiError::EmbeddedNul));
    assert_eq!(api.log("x\0"), Err(ApiError::EmbeddedNul));
    assert_eq!(api.play_sample("\0"), Err(ApiError::EmbeddedNul));
    assert_eq!(
        api.send_data(ConnectionT(1), &[UserIdT(1)], "ok", "id\0"),
        Err(ApiError::EmbeddedNul)
    );
    assert_eq!(
        api.request_set_local_user_comment(ConnectionT(1), "c\0"),
        Err(ApiError::EmbeddedNul)
    );
    assert_eq!(
        api.request_user_move(ConnectionT(1), UserIdT(1), ChannelIdT(2), Some("p\0w")),
        Err(ApiError::EmbeddedNul)
    );
    assert!(state.borrow().calls.is_empty());
}

#[test]
fn requests_pass_their_arguments() {
    let state = RefCell::new(HostState::default());
    let mut api = handle(&state);
    assert_eq!(api.log("hello"), Ok(()));
    assert_eq!(api.play_sample("/tmp/a.wav"), Ok(()));
    assert_eq!(api.send_data(ConnectionT(1), &[UserIdT(1), UserIdT(2)], "payload", "kind"), Ok(()));
    assert_eq!(api.request_user_move(ConnectionT(1), UserIdT(4), ChannelIdT(2), None), Ok(()));
    assert_eq!(api.request_user_move(ConnectionT(1), UserIdT(4), ChannelIdT(2), Some("pw")), Ok(()));
    assert_eq!(api.request_local_mute(ConnectionT(1), UserIdT(4), true), Ok(()));
    assert_eq!(api.request_local_user_mute(false), Ok(()));
    assert_eq!(api.request_microphone_activation_overwrite(true), Ok(()));
    assert_eq!(
        api.request_local_user_transmission_mode(TransmissionModeT(TransmissionMode::TM_VOICE_ACTIVATION)),
        Ok(())
    );
    assert_eq!(api.request_set_local_user_comment(ConnectionT(1), "hi"), Ok(()));
    let calls = state.borrow().calls.clone();
    assert_eq!(
        calls,
        vec![
            "log hello".to_string(),
            "play_sample /tmp/a.wav".to_string(),
            "send_data 2 payload kind".to_string(),
            "request_user_move 4 2 None".to_string(),
            "request_user_move 4 2 Some(\"pw\")".to_string(),
            "request_local_mute 4 true".to_string(),
            "request_local_user_mute false".to_string(),
            "request_microphone_activation_overwrite true".to_string(),
            "request_local_user_transmission_mode 1".to_string(),
            "request_set_local_user_comment hi".to_string(),
        ]
    );
}

#[test]
fn request_failure_is_reported() {
    let state = RefCell::new(HostState::default());
    state.borrow_mut().status = 8;
    let mut api = handle(&state);
    assert_eq!(api.log("hello"), Err(ApiError::Status(ErrorT::from_code(8))));
}

#[test]
fn handle_keeps_identity_and_table() {
    let state = RefCell::new(HostState::default());
    let api = handle(&state);
    assert_eq!(*api.id(), PluginId(9));
    state.borrow_mut().status = 4;
    assert_eq!(api.api().status(), ErrorT::from_code(4));
}

#[test]
fn output_slot_reuse_releases_the_previous_pointer_first() {
    let state = RefCell::new(HostState::default());
    let mut table = HostTable::new(FakeHost { state: &state });
    let mut slot = FreeableMaybeUninit::new(PluginId(9));
    *slot.as_mut_ptr(&mut table) = 100;
    assert_eq!(slot.assume_init(), 100);
    assert!(state.borrow().freed.is_empty());
    *slot.as_mut_const_ptr(&mut table) = 200;
    assert_eq!(state.borrow().freed, vec![100]);
    assert_eq!(slot.assume_init(), 200);
    assert_eq!(slot.assume_init(), 200);
    slot.release(&mut table);
    assert_eq!(state.borrow().freed, vec![100, 200]);
    slot.release(&mut table);
    assert_eq!(state.borrow().freed, vec![100, 200]);
}

#[test]
fn output_slot_without_commit_releases_nothing() {
    let state = RefCell::new(HostState::default());
    let mut table = HostTable::new(FakeHost { state: &state });
    let mut slot = FreeableMaybeUninit::new(PluginId(9));
    *slot.as_mut_ptr(&mut table) = 100;
    *slot.as_mut_ptr(&mut table) = 300;
    slot.release(&mut table);
    assert!(state.borrow().freed.is_empty());
}

#[test]
fn freeable_releases_its_pointer() {
    let state = RefCell::new(HostState::default());
    let mut table = HostTable::new(FakeHost { state: &state });
    let f = Freeable::of(PluginId(9), 77);
    assert_eq!(f.pointer(), 77);
    f.release(&mut table);
    assert_eq!(state.borrow().freed, vec![77]);
    assert!(state.borrow().calls.is_empty());
}

#[test]
fn channel_of_user_sentinel_is_none() {
    let state = RefCell::new(HostState::default());
    state.borrow_mut().reply_channel = -1;
    let mut api = handle(&state);
    assert_eq!(api.get_channel_of_user(ConnectionT(5), UserIdT(42)), Ok(None));
}

#[test]
fn status_and_search_outcomes() {
    assert_eq!(status_result(ErrorT::from_code(EC_OK)), Ok(()));
    assert_eq!(
        status_result(ErrorT::from_code(3)),
        Err(ApiError::Status(ErrorT::from_code(3)))
    );
    assert_eq!(search_result(ErrorT::from_code(EC_OK), EC_USER_NOT_FOUND, 5u32), Ok(Some(5)));
    assert_eq!(search_result(ErrorT::from_code(EC_USER_NOT_FOUND), EC_USER_NOT_FOUND, 5u32), Ok(None));
    assert_eq!(
        search_result(ErrorT::from_code(7), EC_USER_NOT_FOUND, 5u32),
        Err(ApiError::Status(ErrorT::from_code(7)))
    );
}
