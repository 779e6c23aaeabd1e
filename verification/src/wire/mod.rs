pub mod json;
pub mod number;
pub mod parser;
pub mod reader;
pub mod report;
pub mod roundtrip;
