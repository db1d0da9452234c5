//! Host-allocated memory: a scoped owner that gives it back exactly once, and
//! the out-parameter cell a host call writes such a pointer into.
use vstd::prelude::*;
use vstd::utf8::{decode_utf8, valid_utf8};
use crate::host::{HostAnswer, HostPort, HostRequest, HostTable};
use crate::text::decode_text;
use crate::types::PluginId;

verus! {

/// `after` is `before` with one `free_memory(id, p)` appended when `held` is
/// `Some(p)`, and unchanged when it is `None`.
pub open spec fn spec_released(
    before: Seq<(HostRequest, HostAnswer)>,
    after: Seq<(HostRequest, HostAnswer)>,
    id: PluginId,
    held: Option<usize>,
) -> bool {
    match held {
        Some(p) => after == before.push((HostRequest::FreeMemory(id, p), HostAnswer::Freed)),
        None => after == before,
    }
}

/// Owns one pointer of host-allocated memory, together with the identity it
/// must be given back as. It is not `Clone`: `release` consumes it, so no
/// owner can give the same allocation back twice.
pub struct Freeable {
    pointer: usize,
    plugin_id: PluginId,
}

impl Freeable {
    pub closed spec fn spec_pointer(&self) -> usize {
        self.pointer
    }

    pub closed spec fn spec_plugin_id(&self) -> PluginId {
        self.plugin_id
    }

    /// Takes ownership of `pointer`, to be released as `plugin_id`.
    pub fn of(plugin_id: PluginId, pointer: usize) -> (r: Freeable)
        ensures
            r.spec_pointer() == pointer,
            r.spec_plugin_id() == plugin_id,
    {
        Freeable { plugin_id, pointer }
    }

    /// The owned address, for reading; ownership stays here.
    pub fn pointer(&self) -> (r: usize)
        ensures
            r == self.spec_pointer(),
    {
        self.pointer
    }

    /// Gives the memory back: exactly one host call, `free_memory(plugin_id,
    /// pointer)`, and nothing else.
    pub fn release<P: HostPort>(self, api: &mut HostTable<P>)
        ensures
            final(api).spec_port() == old(api).spec_port(),
            final(api).calls() == old(api).calls().push(
                (HostRequest::FreeMemory(self.spec_plugin_id(), self.spec_pointer()), HostAnswer::Freed),
            ),
    {
        api.free_memory(self.plugin_id, self.pointer);
    }
}

/// An out-parameter cell for a pointer the host writes, which the caller then
/// commits as owned host memory. It owns at most one pointer at a time.
pub struct FreeableMaybeUninit {
    uninit: usize,
    freeable: Option<Freeable>,
    plugin_id: PluginId,
}

impl FreeableMaybeUninit {
    /// The pointer currently owned, if any.
    pub closed spec fn held(&self) -> Option<usize> {
        match self.freeable {
            Some(f) => Some(f.spec_pointer()),
            None => None,
        }
    }

    /// The current content of the cell.
    pub closed spec fn cell(&self) -> usize {
        self.uninit
    }

    pub closed spec fn spec_plugin_id(&self) -> PluginId {
        self.plugin_id
    }

    /// The owned pointer is the one in the cell, owned as this cell's identity.
    pub closed spec fn wf(&self) -> bool {
        match self.freeable {
            Some(f) => f.spec_plugin_id() == self.plugin_id && f.spec_pointer() == self.uninit,
            None => true,
        }
    }

    /// An empty cell whose pointer, once committed, is released as `plugin_id`.
    pub fn new(plugin_id: PluginId) -> (r: Self)
        ensures
            r.wf(),
            r.held() is None,
            r.spec_plugin_id() == plugin_id,
    {
        FreeableMaybeUninit { uninit: 0, freeable: None, plugin_id }
    }

    /// Gives back the pointer held, if any, and makes no other host call.
    pub fn release<P: HostPort>(&mut self, api: &mut HostTable<P>)
        requires
            old(self).wf(),
        ensures
            final(self).wf(),
            final(self).held() is None,
            final(self).cell() == old(self).cell(),
            final(self).spec_plugin_id() == old(self).spec_plugin_id(),
            final(api).spec_port() == old(api).spec_port(),
            spec_released(old(api).calls(), final(api).calls(), old(self).spec_plugin_id(), old(self).held()),
    {
        let held = self.freeable.take();
        match held {
            Some(f) => f.release(api),
            None => {},
        }
    }

    /// The cell for the host to write a pointer into. A pointer committed
    /// earlier is given back first, through exactly one `free_memory` call,
    /// so reusing the cell leaks nothing; with nothing committed no host call
    /// is made.
    pub fn as_mut_ptr<P: HostPort>(&mut self, api: &mut HostTable<P>) -> (cell: &mut usize)
        requires
            old(self).wf(),
        ensures
            *cell == old(self).cell(),
            final(self).cell() == *final(cell),
            final(self).wf(),
            final(self).held() is None,
            final(self).spec_plugin_id() == old(self).spec_plugin_id(),
            final(api).spec_port() == old(api).spec_port(),
            spec_released(old(api).calls(), final(api).calls(), old(self).spec_plugin_id(), old(self).held()),
    {
        self.release(api);
        &mut self.uninit
    }

    /// The cell for a host call whose out-parameter is a pointer to read-only
    /// memory; the same cell as `as_mut_ptr`, with the same release first.
    pub fn as_mut_const_ptr<P: HostPort>(&mut self, api: &mut HostTable<P>) -> (cell: &mut usize)
        requires
            old(self).wf(),
        ensures
            *cell == old(self).cell(),
            final(self).cell() == *final(cell),
            final(self).wf(),
            final(self).held() is None,
            final(self).spec_plugin_id() == old(self).spec_plugin_id(),
            final(api).spec_port() == old(api).spec_port(),
            spec_released(old(api).calls(), final(api).calls(), old(self).spec_plugin_id(), old(self).held()),
    {
        self.as_mut_ptr(api)
    }

    /// Reads the pointer the host wrote and commits it as owned memory, unless
    /// it is owned already. Makes no host call.
    pub fn assume_init(&mut self) -> (r: usize)
        requires
            old(self).wf(),
        ensures
            r == old(self).cell(),
            final(self).wf(),
            final(self).held() == Some(r),
            final(self).cell() == old(self).cell(),
            final(self).spec_plugin_id() == old(self).spec_plugin_id(),
    {
        let val = self.uninit;
        if self.freeable.is_none() {
            self.freeable = Some(Freeable::of(self.plugin_id, val));
        }
        val
    }

    /// Commits the pointer and decodes the NUL-terminated text at it: one
    /// read of host memory; `None` when the bytes are not UTF-8. The memory
    /// stays owned.
    pub(crate) fn assume_init_to_string<P: HostPort>(&mut self, api: &mut HostTable<P>) -> (r: Option<String>)
        requires
            old(self).wf(),
        ensures
            final(self).wf(),
            final(self).held() == Some(old(self).cell()),
            final(self).cell() == old(self).cell(),
            final(self).spec_plugin_id() == old(self).spec_plugin_id(),
            final(api).spec_port() == old(api).spec_port(),
            final(api).calls().len() == old(api).calls().len() + 1,
            final(api).calls().drop_last() == old(api).calls(),
            final(api).calls().last().0 == HostRequest::ReadCString(old(self).cell()),
            match final(api).calls().last().1 {
                HostAnswer::Bytes(b) => match r {
                    Some(s) => valid_utf8(b) && s@ == decode_utf8(b),
                    None => !valid_utf8(b),
                },
                _ => false,
            },
    {
        let p = self.assume_init();
        let bytes = api.read_c_string(p);
        proof {
            assert(api.calls().drop_last() =~= old(api).calls());
        }
        decode_text(bytes.as_slice())
    }
}

} // verus!
