//! The curve points and field elements that a randomness proof is made of, as
//! the account stores them.
//!
//! Each value exists in two shapes with the same content: the one that the
//! arithmetic works on, and the one laid out for the account (`..ZC`).

use vstd::prelude::*;

verus! {

/// An integer below `2^255` that stands for an element of the scalar field, as
/// 32 bytes, least significant first.
#[derive(Clone, Copy)]
pub struct Scalar {
    pub bytes: [u8; 32],
}

/// An element of the field of integers modulo `2^255 - 19`, as five limbs in
/// radix `2^51`.
#[derive(Clone, Copy)]
pub struct FieldElement51(pub [u64; 5]);

/// A field element as the account stores it.
#[derive(Clone, Copy)]
pub struct FieldElementZC {
    pub bytes: [u64; 5],
}

impl FieldElementZC {
    /// Every limb is zero.
    pub open spec fn is_zeroed(&self) -> bool {
        forall|i: int| 0 <= i < 5 ==> self.bytes[i] == 0
    }
}

impl Default for FieldElement51 {
    fn default() -> (e: FieldElement51)
        ensures
            forall|i: int| 0 <= i < 5 ==> e.0[i] == 0,
    {
        FieldElement51([0u64; 5])
    }
}

impl Default for FieldElementZC {
    fn default() -> (e: FieldElementZC)
        ensures
            e.is_zeroed(),
    {
        FieldElementZC { bytes: [0u64; 5] }
    }
}

impl From<FieldElement51> for FieldElementZC {
    fn from(e: FieldElement51) -> (z: FieldElementZC) {
        FieldElementZC { bytes: e.0 }
    }
}

impl vstd::std_specs::convert::FromSpecImpl<FieldElement51> for FieldElementZC {
    open spec fn obeys_from_spec() -> bool {
        true
    }

    open spec fn from_spec(e: FieldElement51) -> FieldElementZC {
        FieldElementZC { bytes: e.0 }
    }
}

impl From<FieldElementZC> for FieldElement51 {
    fn from(z: FieldElementZC) -> (e: FieldElement51) {
        FieldElement51(z.bytes)
    }
}

impl vstd::std_specs::convert::FromSpecImpl<FieldElementZC> for FieldElement51 {
    open spec fn obeys_from_spec() -> bool {
        true
    }

    open spec fn from_spec(z: FieldElementZC) -> FieldElement51 {
        FieldElement51(z.bytes)
    }
}

/// A point `((X:Z), (Y:T))` on the product of two projective lines.
#[allow(non_snake_case)]
#[derive(Clone, Copy)]
pub struct CompletedPoint {
    pub X: FieldElement51,
    pub Y: FieldElement51,
    pub Z: FieldElement51,
    pub T: FieldElement51,
}

/// A completed point as the account stores it.
#[allow(non_snake_case)]
#[derive(Clone, Copy)]
pub struct CompletedPointZC {
    pub X: FieldElementZC,
    pub Y: FieldElementZC,
    pub Z: FieldElementZC,
    pub T: FieldElementZC,
}

impl CompletedPointZC {
    /// Every coordinate is zero.
    pub open spec fn is_zeroed(&self) -> bool {
        self.X.is_zeroed() && self.Y.is_zeroed() && self.Z.is_zeroed() && self.T.is_zeroed()
    }
}

impl Default for CompletedPointZC {
    fn default() -> (p: CompletedPointZC)
        ensures
            p.is_zeroed(),
    {
        let zero = FieldElementZC { bytes: [0u64; 5] };
        CompletedPointZC { X: zero, Y: zero, Z: zero, T: zero }
    }
}

impl From<CompletedPoint> for CompletedPointZC {
    fn from(p: CompletedPoint) -> (z: CompletedPointZC) {
        CompletedPointZC {
            X: FieldElementZC { bytes: p.X.0 },
            Y: FieldElementZC { bytes: p.Y.0 },
            Z: FieldElementZC { bytes: p.Z.0 },
            T: FieldElementZC { bytes: p.T.0 },
        }
    }
}

impl vstd::std_specs::convert::FromSpecImpl<CompletedPoint> for CompletedPointZC {
    open spec fn obeys_from_spec() -> bool {
        true
    }

    open spec fn from_spec(p: CompletedPoint) -> CompletedPointZC {
        CompletedPointZC {
            X: FieldElementZC { bytes: p.X.0 },
            Y: FieldElementZC { bytes: p.Y.0 },
            Z: FieldElementZC { bytes: p.Z.0 },
            T: FieldElementZC { bytes: p.T.0 },
        }
    }
}

impl From<CompletedPointZC> for CompletedPoint {
    fn from(z: CompletedPointZC) -> (p: CompletedPoint) {
        CompletedPoint {
            X: FieldElement51(z.X.bytes),
            Y: FieldElement51(z.Y.bytes),
            Z: FieldElement51(z.Z.bytes),
            T: FieldElement51(z.T.bytes),
        }
    }
}

impl vstd::std_specs::convert::FromSpecImpl<CompletedPointZC> for CompletedPoint {
    open spec fn obeys_from_spec() -> bool {
        true
    }

    open spec fn from_spec(z: CompletedPointZC) -> CompletedPoint {
        CompletedPoint {
            X: FieldElement51(z.X.bytes),
            Y: FieldElement51(z.Y.bytes),
            Z: FieldElement51(z.Z.bytes),
            T: FieldElement51(z.T.bytes),
        }
    }
}

/// A point on the Edwards form of Curve25519.
#[allow(non_snake_case)]
#[derive(Clone, Copy)]
pub struct EdwardsPoint {
    pub X: FieldElement51,
    pub Y: FieldElement51,
    pub Z: FieldElement51,
    pub T: FieldElement51,
}

/// An Edwards point as the account stores it.
#[allow(non_snake_case)]
#[derive(Clone, Copy)]
pub struct EdwardsPointZC {
    pub X: FieldElementZC,
    pub Y: FieldElementZC,
    pub Z: FieldElementZC,
    pub T: FieldElementZC,
}

impl EdwardsPointZC {
    /// Every coordinate is zero.
    pub open spec fn is_zeroed(&self) -> bool {
        self.X.is_zeroed() && self.Y.is_zeroed() && self.Z.is_zeroed() && self.T.is_zeroed()
    }
}

impl Default for EdwardsPointZC {
    fn default() -> (p: EdwardsPointZC)
        ensures
            p.is_zeroed(),
    {
        let zero = FieldElementZC { bytes: [0u64; 5] };
        EdwardsPointZC { X: zero, Y: zero, Z: zero, T: zero }
    }
}

/// A point `(X:Y:Z)` on the projective plane.
#[allow(non_snake_case)]
#[derive(Clone, Copy)]
pub struct ProjectivePoint {
    pub X: FieldElement51,
    pub Y: FieldElement51,
    pub Z: FieldElement51,
}

/// A projective point as the account stores it.
#[allow(non_snake_case)]
#[derive(Clone, Copy)]
pub struct ProjectivePointZC {
    pub X: FieldElementZC,
    pub Y: FieldElementZC,
    pub Z: FieldElementZC,
}

impl ProjectivePointZC {
    /// Every coordinate is zero.
    pub open spec fn is_zeroed(&self) -> bool {
        self.X.is_zeroed() && self.Y.is_zeroed() && self.Z.is_zeroed()
    }
}

impl Default for ProjectivePoint {
    fn default() -> (p: ProjectivePoint)
        ensures
            forall|i: int| 0 <= i < 5 ==> p.X.0[i] == 0 && p.Y.0[i] == 0 && p.Z.0[i] == 0,
    {
        let zero = FieldElement51([0u64; 5]);
        ProjectivePoint { X: zero, Y: zero, Z: zero }
    }
}

impl Default for ProjectivePointZC {
    fn default() -> (p: ProjectivePointZC)
        ensures
            p.is_zeroed(),
    {
        let zero = FieldElementZC { bytes: [0u64; 5] };
        ProjectivePointZC { X: zero, Y: zero, Z: zero }
    }
}

impl From<ProjectivePoint> for ProjectivePointZC {
    fn from(p: ProjectivePoint) -> (z: ProjectivePointZC) {
        ProjectivePointZC {
            X: FieldElementZC { bytes: p.X.0 },
            Y: FieldElementZC { bytes: p.Y.0 },
            Z: FieldElementZC { bytes: p.Z.0 },
        }
    }
}

impl vstd::std_specs::convert::FromSpecImpl<ProjectivePoint> for ProjectivePointZC {
    open spec fn obeys_from_spec() -> bool {
        true
    }

    open spec fn from_spec(p: ProjectivePoint) -> ProjectivePointZC {
        ProjectivePointZC {
            X: FieldElementZC { bytes: p.X.0 },
            Y: FieldElementZC { bytes: p.Y.0 },
            Z: FieldElementZC { bytes: p.Z.0 },
        }
    }
}

impl From<ProjectivePointZC> for ProjectivePoint {
    fn from(z: ProjectivePointZC) -> (p: ProjectivePoint) {
        ProjectivePoint {
            X: FieldElement51(z.X.bytes),
            Y: FieldElement51(z.Y.bytes),
            Z: FieldElement51(z.Z.bytes),
        }
    }
}

impl vstd::std_specs::convert::FromSpecImpl<ProjectivePointZC> for ProjectivePoint {
    open spec fn obeys_from_spec() -> bool {
        true
    }

    open spec fn from_spec(z: ProjectivePointZC) -> ProjectivePoint {
        ProjectivePoint {
            X: FieldElement51(z.X.bytes),
            Y: FieldElement51(z.Y.bytes),
            Z: FieldElement51(z.Z.bytes),
        }
    }
}

/// What a stage of the proof's verification hands to the next.
#[allow(non_snake_case)]
#[derive(Clone, Copy)]
pub struct EcvrfIntermediate {
    pub r: FieldElementZC,
    pub N_s: FieldElementZC,
    pub D: FieldElementZC,
    pub t13: FieldElementZC,
    pub t15: FieldElementZC,
}

impl EcvrfIntermediate {
    /// Every element is zero.
    pub open spec fn is_zeroed(&self) -> bool {
        self.r.is_zeroed() && self.N_s.is_zeroed() && self.D.is_zeroed() && self.t13.is_zeroed()
            && self.t15.is_zeroed()
    }
}

/// A proof of randomness: a point and two scalars.
#[allow(non_snake_case)]
#[derive(Clone, Copy)]
pub struct EcvrfProofZC {
    pub Gamma: EdwardsPointZC,
    pub c: Scalar,
    pub s: Scalar,
}

impl EcvrfProofZC {
    /// Every coordinate and every byte is zero.
    pub open spec fn is_zeroed(&self) -> bool {
        &&& self.Gamma.is_zeroed()
        &&& forall|i: int| 0 <= i < 32 ==> self.c.bytes[i] == 0
        &&& forall|i: int| 0 <= i < 32 ==> self.s.bytes[i] == 0
    }
}

impl Default for EcvrfProofZC {
    fn default() -> (p: EcvrfProofZC)
        ensures
            p.is_zeroed(),
    {
        let zero = FieldElementZC { bytes: [0u64; 5] };
        EcvrfProofZC {
            Gamma: EdwardsPointZC { X: zero, Y: zero, Z: zero, T: zero },
            c: Scalar { bytes: [0u8; 32] },
            s: Scalar { bytes: [0u8; 32] },
        }
    }
}

} // verus!
