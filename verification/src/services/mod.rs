pub mod climate;
pub mod switches;
