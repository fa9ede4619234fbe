pub mod answer;
pub mod question;
