//! The decisions of the graphical shell, apart from its widgets: what each
//! of its parts does with a message, and what it asks of the others.

pub mod dialog_find;
pub mod page_connection;
pub mod page_manage;
pub mod page_noise;
pub mod window;
