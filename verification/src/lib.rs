//! Verified core of a small Intel VT-x (VMX) bring-up: the decisions and bit
//! arithmetic behind VMX detection, entering VMX root operation, CR/MSR
//! handling, VMCS access and reading the segmentation state.
//!
//! Everything that touches the processor (privileged instructions, model
//! specific registers, firmware allocation) is performed by the caller; the
//! functions here take what the processor reported as plain values and
//! decide what comes next.
pub mod vmx;
