//! A permissioned content-publishing graph: hubs hold releases and posts,
//! contributed by principals whose capability records govern what they may
//! add. Relationship records live at deterministically derived addresses,
//! which makes every link unique and guards against duplicate insertion.

pub mod addr;
pub mod index;
pub mod laws;
pub mod registry;
pub mod state;
pub mod records;
pub mod text;
