//! Decision logic of the PO scanner: the scan modes, the extraction pipeline,
//! the naming of processed files and the state of the desktop front-end.

pub mod mode;
pub mod po;
pub mod barcode;
pub mod pipeline;
pub mod files;
pub mod uuid_draw;
pub mod scanner_hw;
pub mod text;
pub mod events;
pub mod watch;
pub mod tesseract;
pub mod filing;
pub mod app_state;
pub mod worker;
