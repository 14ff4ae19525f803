//! The elements that documents and headers are made of.

pub mod field_char;
pub mod field_code;
pub mod frame_property;
pub mod instr_text;
pub mod justification;
pub mod num_pages;
pub mod page_num;
pub mod paragraph;
pub mod paragraph_property;
pub mod paragraph_style;
pub mod run;
pub mod run_property;
pub mod structured_data_tag_property;
pub mod table;
pub mod text;
