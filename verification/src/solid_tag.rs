use vstd::prelude::*;

verus! {

/// Which solid bodies block each other.
#[derive(Clone, Copy, Debug, PartialEq, Eq, Structural)]
pub enum SolidTag {
    Default,
    Player,
    Enemy,
    Noclip,
}

/// Two tags collide when neither is `Noclip` and at least one is `Default`.
pub open spec fn spec_collides(a: SolidTag, b: SolidTag) -> bool {
    if a == SolidTag::Noclip || b == SolidTag::Noclip {
        false
    } else {
        a == SolidTag::Default || b == SolidTag::Default
    }
}

impl SolidTag {
    pub fn collides_with(&self, other: &SolidTag) -> (res: bool)
        ensures
            res == spec_collides(*self, *other),
    {
        match (self, other) {
            (SolidTag::Noclip, _) | (_, SolidTag::Noclip) => false,
            (SolidTag::Default, _) | (_, SolidTag::Default) => true,
            _ => false,
        }
    }
}

impl Default for SolidTag {
    fn default() -> (res: SolidTag)
        ensures
            res == SolidTag::Default,
    {
        SolidTag::Default
    }
}

/// Collision between solid tags does not depend on which body asks.
pub proof fn lemma_collides_symmetric(a: SolidTag, b: SolidTag)
    ensures
        spec_collides(a, b) == spec_collides(b, a),
{
}

/// A `Noclip` body never collides with anything.
pub proof fn lemma_noclip_never_collides(a: SolidTag)
    ensures
        !spec_collides(SolidTag::Noclip, a),
        !spec_collides(a, SolidTag::Noclip),
{
}

} // verus!
