pub mod a02yyuw;
pub mod poll;
pub mod scale;
