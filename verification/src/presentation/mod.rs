//! The scheduler loop, as step-by-step decisions.
//!
//! [`transition`] and [`driver`] hold machines: a machine names the next action, the action
//! is performed, and the reply is handed back. [`perform`] and [`handler`] perform actions on
//! the objects that a session owns. What holds of every run stands in [`transition_laws`]
//! and [`driver_laws`]; [`transition_order`] and [`driver_order`] tell, action by action, what
//! follows what. [`machine_laws`] and [`perform_laws`] tell what the machines take and what
//! performing an action does.
pub mod driver;
pub mod driver_laws;
pub mod driver_order;
pub mod handler;
pub mod machine_laws;
pub mod perform;
pub mod perform_laws;
pub mod source;
pub mod transition;
pub mod transition_laws;
pub mod transition_order;
