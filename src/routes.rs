pub mod question;
