//! Detection of the runtime environment: container engine, distribution and
//! SELinux state. Nothing here changes the system; the probing itself is done
//! by the caller, and this module decides what the probed values mean.
pub mod inspector;
