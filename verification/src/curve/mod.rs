pub mod calculator;
pub mod fees;
pub mod math;
pub mod constant_product;
pub mod wide;
pub mod stable;
pub mod precise;
pub mod offset;
pub mod constant_price;
pub mod base;
