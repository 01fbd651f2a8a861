//! Classification of projects: the category a project belongs to and the
//! order in which a listing of projects is sorted.

pub mod laws;
pub mod meta;
pub mod text;
