pub mod add;
pub mod init;
pub mod list;
pub mod route;
pub mod run;
