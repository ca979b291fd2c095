//! Native side of the editor's desktop shell: the commands that the web
//! front-end invokes, as plain functions with proved contracts.

pub mod greeting;
pub mod scope;

pub use greeting::greet;
pub use scope::{project_scope_grant, scope_extension_result, scope_failure_message, ScopeGrant};
