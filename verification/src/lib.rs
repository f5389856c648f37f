//! Bookkeeping for a process that watches its own memory accesses.
//!
//! Two controllers live here. The fault controller in [`sigsegv`] turns each
//! first touch of a reserved address range into the mapping of one page. The
//! sampling controller in [`timer_sampler`] reads a set of performance
//! counters on every tick of an interval timer. Both decide *what* has to be
//! done and in which order; carrying a decision out against the operating
//! system is left to the caller.
//!
//! A controller is a value, made by the functions that set one up. A
//! handler takes the controller it works for as an argument, so none can
//! run before there is a controller, and no measurement can be ended that
//! never began. Setting a controller up again makes a new value and leaves
//! the old one as it was. The fields of a controller are open: a caller
//! that keeps the flags where a signal handler can reach them brings the
//! controller up to date by writing to it, and a caller that writes a
//! controller by hand answers for what it wrote.
//!
//! What a handler has to do is handed out as a [`plan::Plan`]: a short list
//! of steps in a buffer of fixed size. Making and reading a plan allocates
//! nothing, as befits code that runs inside a signal handler.

pub mod counter;
pub mod error;
pub mod page;
pub mod plan;
pub mod platform;
pub mod request;
pub mod sigsegv;
pub mod timer_sampler;
pub mod trace;
