//! Classification of host status codes.
use vstd::prelude::*;
use crate::traits::{CheckableId, ErrAsResult};
use crate::types::{ChannelIdT, ErrorT};

verus! {

/// What a host status means to the caller of a search operation.
#[derive(Clone, Copy, Debug, PartialEq, Eq, Structural)]
pub enum Classified {
    /// The host reported success.
    Success,
    /// The host reported one of the "nothing found" codes.
    Absent,
    /// Any other status, carried on unchanged.
    Failed(ErrorT),
}

/// The meaning of `status` when the codes in `absent` stand for "nothing found".
pub open spec fn spec_classify(status: ErrorT, absent: Seq<i32>) -> Classified {
    if status.spec_is_ok() {
        Classified::Success
    } else if absent.contains(status.spec_code()) {
        Classified::Absent
    } else {
        Classified::Failed(status)
    }
}

/// Sorts a host status into success, "nothing found" (any code in `absent`),
/// or a failure that carries the original status.
pub fn classify(status: ErrorT, absent: &[i32]) -> (r: Classified)
    ensures
        r == spec_classify(status, absent@),
{
    if status.is_ok() {
        return Classified::Success;
    }
    let code = status.code();
    let mut i: usize = 0;
    while i < absent.len()
        invariant
            0 <= i <= absent@.len(),
            code == status.spec_code(),
            !status.spec_is_ok(),
            forall|j: int| 0 <= j < i ==> absent@[j] != code,
        decreases absent@.len() - i,
    {
        if absent[i] == code {
            assert(absent@[i as int] == code);
            assert(absent@.contains(code));
            return Classified::Absent;
        }
        i = i + 1;
    }
    Classified::Failed(status)
}

/// The channel a raw handle names: negative values mean "no channel".
pub open spec fn spec_channel(c: ChannelIdT) -> Option<ChannelIdT> {
    if c.0 < 0 {
        None
    } else {
        Some(c)
    }
}

impl CheckableId for ChannelIdT {
    open spec fn spec_check(self) -> Option<Self> {
        spec_channel(self)
    }

    fn check(self) -> (r: Option<Self>) {
        if self.0 < 0 {
            None
        } else {
            Some(self)
        }
    }
}

impl ErrAsResult for ErrorT {
    type ErrType = ErrorT;

    open spec fn spec_resultify(self) -> Result<Self, Self::ErrType> {
        if self.spec_is_ok() {
            Ok(self)
        } else {
            Err(self)
        }
    }

    fn resultify(self) -> (r: Result<Self, Self::ErrType>) {
        if self.is_ok() {
            Ok(self)
        } else {
            Err(self)
        }
    }
}

/// The "no channel" sentinel decodes to `None`; every non-negative handle
/// decodes to itself.
pub proof fn lemma_channel_sentinel(v: i32)
    ensures
        spec_channel(ChannelIdT(-1i32)) == None::<ChannelIdT>,
        v >= 0 ==> spec_channel(ChannelIdT(v)) == Some(ChannelIdT(v)),
        v < 0 ==> spec_channel(ChannelIdT(v)) == None::<ChannelIdT>,
{
}

} // verus!
