pub mod add;
