pub mod logs;
