pub mod numeric;
pub mod choice;
