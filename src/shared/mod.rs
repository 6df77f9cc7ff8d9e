pub mod errors;
pub mod object_mothers;
