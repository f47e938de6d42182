use vstd::prelude::*;

verus! {

/// An identity in the host's address space: a 32-byte account or program id.
#[derive(Clone, Copy, Debug, Hash)]
pub struct ActorId {
    pub bytes: [u8; 32],
}

impl PartialEq for ActorId {
    fn eq(&self, other: &ActorId) -> (r: bool) {
        let mut i: usize = 0;
        while i < 32
            invariant
                i <= 32,
                forall|j: int| 0 <= j < i ==> self.bytes[j] == other.bytes[j],
            decreases 32 - i,
        {
            if self.bytes[i] != other.bytes[i] {
                return false;
            }
            i = i + 1;
        }
        proof {
            assert(self.bytes@ =~= other.bytes@);
        }
        true
    }
}

impl Eq for ActorId {}

impl vstd::std_specs::cmp::PartialEqSpecImpl for ActorId {
    open spec fn obeys_eq_spec() -> bool {
        true
    }

    open spec fn eq_spec(&self, other: &ActorId) -> bool {
        self.bytes@ == other.bytes@
    }
}

/// Errors that an owner-gated operation can report.
#[derive(Clone, Copy, Debug, PartialEq, Eq, Structural)]
pub enum TmgError {
    /// The invoking identity is not the current owner.
    Unauthorized,
}

/// Two identities are the same exactly when their bytes agree.
pub proof fn lemma_same_bytes_same_actor(a: ActorId, b: ActorId)
    ensures
        (a.bytes@ == b.bytes@) <==> (a == b),
{
    if a.bytes@ == b.bytes@ {
        assert(a.bytes =~= b.bytes);
    }
}

/// Succeeds exactly when `invoker` is `owner`.
pub fn require_owner(invoker: ActorId, owner: ActorId) -> (r: Result<(), TmgError>)
    ensures
        r is Ok <==> invoker == owner,
        r is Err ==> r == Err::<(), TmgError>(TmgError::Unauthorized),
{
    proof {
        lemma_same_bytes_same_actor(invoker, owner);
    }
    if invoker == owner {
        Ok(())
    } else {
        Err(TmgError::Unauthorized)
    }
}

} // verus!
