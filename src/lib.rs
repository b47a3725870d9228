//! Desktop entry generation: a launcher descriptor, its text form and the
//! place where it is written.
pub mod desktop_file;
pub mod lines;
