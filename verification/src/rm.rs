pub mod contractor;
