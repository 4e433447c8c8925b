pub mod resources;
