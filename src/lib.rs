//! Review requests held in a pending queue and the sweep that moves the ones
//! left unreviewed past their deadline to a dead-letter queue.
//!
//! `model` holds the two record shapes and the age rule, `sweep` the decisions
//! a sweep tick makes for each pending entry, `withdraw` the lookup behind a
//! withdrawal, and `transitions` a model of the two queues with the laws that
//! the sweep and the withdrawal obey against it.

pub mod model;
pub mod sweep;
pub mod transitions;
pub mod withdraw;
