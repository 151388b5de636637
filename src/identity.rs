use vstd::prelude::*;

verus! {

/// A fixed-size public identifier of an account or actor on the host chain.
#[derive(Clone, Copy, Debug)]
pub struct Identity {
    pub bytes: [u8; 32],
}

impl View for Identity {
    type V = Seq<u8>;

    open spec fn view(&self) -> Seq<u8> {
        self.bytes@
    }
}

/// The all-zero identity.
pub open spec fn zero_identity() -> Seq<u8> {
    Seq::new(32, |_i: int| 0u8)
}

impl Identity {
    pub fn new(bytes: [u8; 32]) -> (r: Identity)
        ensures
            r@ == bytes@,
    {
        Identity { bytes }
    }

    /// The all-zero identity, the host's default value for an identifier.
    pub fn zero() -> (r: Identity)
        ensures
            r@ == zero_identity(),
    {
        let bytes: [u8; 32] = [0u8; 32];
        assert(bytes@ =~= zero_identity());
        Identity { bytes }
    }

    /// Whether the two identities hold the same bytes.
    pub fn same_as(&self, other: &Identity) -> (r: bool)
        ensures
            r == (self@ == other@),
    {
        let mut i: usize = 0;
        while i < 32
            invariant
                i <= 32,
                self@.len() == 32,
                other@.len() == 32,
                forall|j: int| 0 <= j < i ==> self@[j] == other@[j],
            decreases 32 - i,
        {
            if self.bytes[i] != other.bytes[i] {
                return false;
            }
            i += 1;
        }
        assert(self@ =~= other@);
        true
    }
}

impl PartialEq for Identity {
    fn eq(&self, other: &Identity) -> (r: bool) {
        self.same_as(other)
    }
}

impl vstd::std_specs::cmp::PartialEqSpecImpl for Identity {
    open spec fn obeys_eq_spec() -> bool {
        true
    }

    open spec fn eq_spec(&self, other: &Identity) -> bool {
        self@ == other@
    }
}

impl Eq for Identity {
}

/// The address of the host's system program.
pub open spec fn system_program_address() -> Seq<u8> {
    zero_identity()
}

/// Relies on anchor_lang's `System::id()`: the system program's address,
/// declared as the base58 text of thirty-two '1's, that is thirty-two zero
/// bytes.
#[verifier::external_body]
pub(crate) fn system_program_id() -> (r: Identity)
    ensures
        r@ == system_program_address(),
{
    Identity { bytes: <anchor_lang::system_program::System as anchor_lang::Id>::id().to_bytes() }
}

} // verus!
