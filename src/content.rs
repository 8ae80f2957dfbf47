use vstd::prelude::*;

verus! {

/// The digest that names an immutable piece of content.
#[derive(Debug, Clone, Copy, PartialEq, Eq)]
pub struct ContentId {
    pub bytes: [u8; 32],
}

impl View for ContentId {
    type V = Seq<u8>;

    open spec fn view(&self) -> Seq<u8> {
        self.bytes@
    }
}

impl ContentId {
    /// The id made of 32 zero bytes, used where an address is shared without content.
    pub fn zero() -> (r: ContentId)
        ensures
            r@ == Seq::new(32, |i: int| 0u8),
    {
        let r = ContentId { bytes: [0u8; 32] };
        assert(r@ =~= Seq::new(32, |i: int| 0u8));
        r
    }
}

/// How the content behind an id is read: one opaque blob, or a list of ids.
#[derive(Debug, Clone, Copy, PartialEq, Eq, Structural)]
pub enum ContentShape {
    Single,
    Sequence,
}

} // verus!
