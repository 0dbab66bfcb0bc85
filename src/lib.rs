pub mod decode;
pub mod image;
pub mod laws;
pub mod machine;
