//! Turns Maven `<dependency>` declarations into Gradle `implementation` lines.
//!
//! [`maven_to_gradle`] is the whole conversion. [`translate_nodes`] is the part
//! of it that follows the XML parser, on plain values.

pub mod convert;
pub mod error;
pub mod laws;
pub mod report;
pub mod text;
pub mod xml;

pub use crate::convert::{get_dep, get_tag, gradle_line, maven_to_gradle, translate_nodes};
pub use crate::error::ConversionError;
pub use crate::report::{failure_report, success_report};
pub use crate::text::{join_lines, soround_str, strip_blanks};
pub use crate::xml::{Child, Node};
