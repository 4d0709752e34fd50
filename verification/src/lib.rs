//! Discrete control state for a torque-stabilised rigid body.
//!
//! A host simulation perturbs every tracked body once and then holds its
//! orientation with a damped torque law. The numeric side of that loop works
//! on floating-point quaternions and inertia tensors and lives with the host;
//! this crate holds the part of the loop that is a decision: the one-shot
//! flag that lets the perturbation through exactly once.

pub mod perturbation;
