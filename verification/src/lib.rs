pub mod app;
pub mod clock;
pub mod entropy;
pub mod text;
pub mod texts;
pub mod yijing;
pub mod view;
