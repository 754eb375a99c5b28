pub mod create_share;
pub mod initialize;
pub mod register_file;
