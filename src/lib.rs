//! Routing of EVM calls to precompiled contracts at fixed addresses, and the
//! permission filter that guards the generic native-call dispatcher.

pub mod address;
pub mod policy;
pub mod registry;
