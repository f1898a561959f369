pub mod literal;
