//! Where tasks are kept: the gateway's shared cache, and the Anypoint object
//! store.

pub mod object_store_v2;
pub mod task_store;
