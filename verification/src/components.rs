//! The encoder's two component counts and their validation.

use crate::error::HashError;
use vstd::prelude::*;

verus! {

/// Smallest admissible component count on either axis.
pub const MIN_COMPONENTS: u32 = 1;

/// Largest admissible component count on either axis.
pub const MAX_COMPONENTS: u32 = 9;

/// Count used on the horizontal axis when none is given.
pub const DEFAULT_COMPONENTS_X: u32 = 4;

/// Count used on the vertical axis when none is given.
pub const DEFAULT_COMPONENTS_Y: u32 = 3;

/// A count the encoder accepts on one axis.
pub open spec fn in_component_range(n: u32) -> bool {
    MIN_COMPONENTS <= n <= MAX_COMPONENTS
}

/// What validation makes of the two optional counts: the pair to encode
/// with, or the reason for refusing them.
pub open spec fn component_verdict(x: Option<u32>, y: Option<u32>) -> Result<(u32, u32), HashError> {
    if x.is_some() != y.is_some() {
        Err(HashError::MismatchedComponents)
    } else {
        let cx = x.unwrap_or(DEFAULT_COMPONENTS_X);
        let cy = y.unwrap_or(DEFAULT_COMPONENTS_Y);
        if in_component_range(cx) && in_component_range(cy) {
            Ok((cx, cy))
        } else {
            Err(HashError::OutOfRangeComponents)
        }
    }
}

/// A validated pair of component counts: both lie in `1..=9`.
#[derive(Debug, Clone, Copy, PartialEq, Eq)]
pub struct ComponentCounts {
    x: u32,
    y: u32,
}

impl View for ComponentCounts {
    type V = (u32, u32);

    closed spec fn view(&self) -> (u32, u32) {
        (self.x, self.y)
    }
}

impl ComponentCounts {
    #[verifier::type_invariant]
    spec fn in_range(self) -> bool {
        in_component_range(self.x) && in_component_range(self.y)
    }

    /// The count on the horizontal axis.
    pub fn x(&self) -> (n: u32)
        ensures
            n == self@.0,
            in_component_range(n),
    {
        proof {
            use_type_invariant(self);
        }
        self.x
    }

    /// The count on the vertical axis.
    pub fn y(&self) -> (n: u32)
        ensures
            n == self@.1,
            in_component_range(n),
    {
        proof {
            use_type_invariant(self);
        }
        self.y
    }
}

/// Checks the two optional counts.
///
/// Both must be given or both left out; a missing pair becomes `(4, 3)`;
/// each count must lie in `1..=9`. A lone count is reported as mismatched
/// whatever its value.
pub fn validate_components(x: Option<u32>, y: Option<u32>) -> (r: Result<
    ComponentCounts,
    HashError,
>)
    ensures
        match component_verdict(x, y) {
            Ok(pair) => r matches Ok(c) && c@ == pair,
            Err(e) => r == Err::<ComponentCounts, HashError>(e),
        },
        x is None && y is None ==> (r matches Ok(c) && c@ == (4u32, 3u32)),
        x.is_some() != y.is_some() <==> r == Err::<ComponentCounts, HashError>(
            HashError::MismatchedComponents,
        ),
{
    let (cx, cy): (u32, u32) = match (x, y) {
        (Some(cx), Some(cy)) => (cx, cy),
        (None, None) => (DEFAULT_COMPONENTS_X, DEFAULT_COMPONENTS_Y),
        _ => {
            return Err(HashError::MismatchedComponents);
        },
    };
    if cx < MIN_COMPONENTS || cx > MAX_COMPONENTS || cy < MIN_COMPONENTS || cy > MAX_COMPONENTS {
        return Err(HashError::OutOfRangeComponents);
    }
    Ok(ComponentCounts { x: cx, y: cy })
}

} // verus!
