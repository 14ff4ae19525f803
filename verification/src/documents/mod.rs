//! The element model: documents, headers and the elements inside them.

pub mod document;
pub mod elements;
pub mod footer;
pub mod header;

pub use crate::markup::BuildXML;
pub use document::{Document, DocumentContent};
pub use elements::field_char::FieldChar;
pub use elements::frame_property::FrameProperty;
pub use elements::instr_text::{InstrNUMPAGES, InstrPAGE, InstrText};
pub use elements::justification::Justification;
pub use elements::num_pages::NumPages;
pub use elements::page_num::PageNum;
pub use elements::paragraph::Paragraph;
pub use elements::paragraph_property::ParagraphProperty;
pub use elements::paragraph_style::ParagraphStyle;
pub use elements::run::{Run, RunChild};
pub use elements::run_property::RunProperty;
pub use elements::structured_data_tag_property::StructuredDataTagProperty;
pub use elements::table::{Table, TableCell, TableRow};
pub use elements::text::Text;
pub use footer::{Footer, FooterChild};
pub use header::{Header, HeaderChild};
