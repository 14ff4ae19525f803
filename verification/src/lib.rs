//! A typed model of word-processing documents and its serialization to XML markup.
//!
//! A tree of elements is built by chained calls that take an element by value
//! and give it back changed. `BuildXML::build` renders an element and all
//! that it holds into the bytes of one XML part. What the bytes are is stated
//! over tokens: every element has its markup as a sequence of tokens, and the
//! bytes are the UTF-8 encoding of the text that the tokens spell.

pub mod decimal;
pub mod documents;
pub mod markup;
pub mod types;
pub mod xml_builder;
