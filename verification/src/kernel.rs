//! The smoothing kernel that one convolution step applies.
//!
//! One family is modelled: the Gaussian ("heat") kernel. Its two
//! parameters travel together: a time step and the spread parameter
//! derived from it, the reciprocal square root of the time step. The
//! numeric derivation, the density itself and the effective support
//! interval (four spreads to either side) are evaluated by the caller
//! on its scalar type; this type keeps the pair as one tagged value so
//! that neither parameter can move without the other.

use vstd::prelude::*;

verus! {

/// A convolution kernel, parametrized by its time step.
#[derive(Debug, Clone, Copy)]
pub enum Kernel<R> {
    /// The Gaussian kernel of the heat equation. `std_dev_inv` must be
    /// the reciprocal square root of `time_step`; [`Kernel::heat`]
    /// takes both at once so that they are replaced atomically.
    Heat { time_step: R, std_dev_inv: R },
}

impl<R: Copy> Kernel<R> {
    /// The time step of the kernel.
    pub open spec fn spec_time_step(self) -> R {
        match self {
            Kernel::Heat { time_step, .. } => time_step,
        }
    }

    /// The spread parameter of the kernel.
    pub open spec fn spec_std_dev_inv(self) -> R {
        match self {
            Kernel::Heat { std_dev_inv, .. } => std_dev_inv,
        }
    }

    /// Builds a heat kernel from a time step and the spread parameter
    /// derived from it. The caller computes the derivation; handing
    /// both over in one call is what keeps them consistent.
    pub fn heat(time_step: R, std_dev_inv: R) -> (r: Self)
        ensures
            r == (Kernel::Heat { time_step, std_dev_inv }),
    {
        Kernel::Heat { time_step, std_dev_inv }
    }

    /// The time step of the kernel.
    pub fn time_step(&self) -> (r: R)
        ensures
            r == self.spec_time_step(),
    {
        match self {
            Kernel::Heat { time_step, .. } => *time_step,
        }
    }

    /// The spread parameter of the kernel.
    pub fn std_dev_inv(&self) -> (r: R)
        ensures
            r == self.spec_std_dev_inv(),
    {
        match self {
            Kernel::Heat { std_dev_inv, .. } => *std_dev_inv,
        }
    }
}

} // verus!
