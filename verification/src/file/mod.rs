pub mod file_contents_query;
