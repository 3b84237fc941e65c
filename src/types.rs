pub mod pagination;
pub mod params;
pub mod question;
