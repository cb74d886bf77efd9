//! What the web backend cannot express, and why a request is turned down.
use crate::format::TextureFormat;
use crate::format::VertexFormat;
use vstd::prelude::*;

verus! {

/// Something in a request that the web backend cannot express.
#[derive(Clone, Copy, Debug, PartialEq, Eq, Structural)]
pub enum Unsupported {
    /// A texture format that WebGPU has no counterpart for (the block-compressed ones).
    TextureFormat(TextureFormat),
    /// A 64-bit vertex format, which needs a feature that the web does not have.
    VertexFormat(VertexFormat),
    /// Border clamping in a sampler, which WebGPU does not have.
    ClampToBorder,
    /// An array of bindings in a bind group layout entry.
    BindingArray,
    /// An array of texture views bound as one resource.
    TextureViewArray,
    /// Device features that exist only on native backends; the field holds those feature bits.
    NativeFeatures(u64),
}

/// The first reason, in order, why an item of `items` cannot be expressed on the web.
pub open spec fn first_reason<A>(items: Seq<A>, reason: spec_fn(A) -> Option<Unsupported>) -> Option<
    Unsupported,
>
    decreases items.len(),
{
    if items.len() == 0 {
        None
    } else if reason(items[0]) is Some {
        reason(items[0])
    } else {
        first_reason(items.drop_first(), reason)
    }
}

/// With no first reason among `items`, no item has a reason.
pub proof fn lemma_no_first_reason<A>(items: Seq<A>, reason: spec_fn(A) -> Option<Unsupported>)
    requires
        first_reason(items, reason) is None,
    ensures
        forall|i: int| 0 <= i < items.len() ==> reason(#[trigger] items[i]) is None,
    decreases items.len(),
{
    if items.len() > 0 {
        lemma_no_first_reason(items.drop_first(), reason);
        assert forall|i: int| 0 <= i < items.len() implies reason(#[trigger] items[i]) is None by {
            if i > 0 {
                assert(items[i] == items.drop_first()[i - 1]);
            }
        }
    }
}

/// The first reason of a sequence is the first reason of its suffix from `i`, once no item before
/// `i` has a reason.
pub proof fn lemma_first_reason_skip<A>(
    items: Seq<A>,
    reason: spec_fn(A) -> Option<Unsupported>,
    i: int,
)
    requires
        0 <= i < items.len(),
        first_reason(items, reason) == first_reason(items.skip(i), reason),
    ensures
        reason(items[i]) is Some ==> first_reason(items, reason) == reason(items[i]),
        reason(items[i]) is None ==> first_reason(items, reason) == first_reason(
            items.skip(i + 1),
            reason,
        ),
{
    assert(items.skip(i).drop_first() =~= items.skip(i + 1));
    assert(items.skip(i)[0] == items[i]);
}

} // verus!
