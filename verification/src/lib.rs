//! Module ingestion for a JavaScript/CSS bundler: from one parsed source file
//! to the analysed view of it that the module graph links.
//!
//! The scan walks the statements of a parsed module and extracts its import
//! records, its imports and exports, a side-effect flag per statement and the
//! symbols each statement touches. The side-effects resolver layers a plugin
//! hook, the package manifest and the scan into one verdict per module. The
//! assembler puts both into an [`EcmaView`](view::EcmaView).
pub mod ast_scanner;
pub mod body_scan;
pub mod diagnostic;
pub mod identifier;
pub mod import_record;
pub mod module_id;
pub mod options;
pub mod package_json;
pub mod scan_laws;
pub mod scan_model;
pub mod side_effects;
pub mod stmt_info;
pub mod symbol;
pub mod syntax;
pub mod view;
pub mod view_meta;
