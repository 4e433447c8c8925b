pub mod parts_manager;
pub mod prim;
